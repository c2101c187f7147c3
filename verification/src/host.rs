//! The host as this layer expects it to behave, and what follows for a guest that talks to it
//! through this layer.
//!
//! Nothing here runs. The host is described by what it keeps (a slot for one method call, the
//! rest of a method listing, a table of descriptors) and by how each request changes that and
//! which status it answers. The laws then join the two sides: they feed the status that the host
//! answers to the function of this layer that decides on it.

use vstd::prelude::*;
use crate::component::{
    attributes_of_bits, end_length_outcome, end_outcome, list_next_outcome, list_position_after,
    methods_next_outcome, methods_position_after, start_outcome, EndOutcome, InvokeResult,
    MethodAttributes,
};
use crate::descriptor::dup_outcome;
use crate::error::{code_of_error, error_of_code, is_fatal_code, lemma_code_round_trip, Error};

verus! {

/// Whether a method call can fail with this error once it has been started.
pub open spec fn is_call_failure(error: Error) -> bool {
    error == Error::NoSuchComponent || error == Error::NoSuchMethod || error
        == Error::BadParameters || error == Error::Other
}

/// Whether the host can refuse to start a method call with this error.
pub open spec fn is_start_refusal(error: Error) -> bool {
    error == Error::CborDecode || error == Error::BadDescriptor || error
        == Error::TooManyDescriptors
}

/// What a method call gives in the end: the encoded result, or the error that it failed with.
pub type Outcome = Result<Seq<u8>, Error>;

/// Whether the outcome is one that a call can have.
pub open spec fn outcome_valid(outcome: Outcome) -> bool {
    match outcome {
        Ok(bytes) => bytes.len() <= isize::MAX,
        Err(e) => is_call_failure(e),
    }
}

/// What a guest learns of an outcome when it fetches it: the length of the result, or the
/// error.
pub open spec fn fetched(outcome: Outcome) -> Result<nat, Error> {
    match outcome {
        Ok(bytes) => Ok(bytes.len()),
        Err(e) => Err(e),
    }
}

/// The host's one slot for a method call.
pub enum Slot {
    /// No call is in flight.
    Idle,
    /// A call has been issued, and its outcome is not available yet.
    Pending { outcome: Outcome },
    /// A call has an outcome that waits to be fetched.
    Ready { outcome: Outcome },
}

/// A request to start a method call, as the host sees it.
pub struct StartRequest {
    /// The reason for which the host refuses the request, if it does.
    pub refusal: Option<Error>,
    /// Whether the call completes at once.
    pub immediate: bool,
    /// What the call will give.
    pub outcome: Outcome,
}

impl StartRequest {
    /// Whether the request is one that the host can be faced with.
    pub open spec fn valid(self) -> bool {
        &&& outcome_valid(self.outcome)
        &&& self.refusal matches Some(e) ==> is_start_refusal(e)
    }
}

/// The host starts a call: the status that it answers, and the slot afterwards. A refused call
/// leaves the slot as it was.
pub open spec fn slot_start(slot: Slot, request: StartRequest) -> (int, Slot)
    recommends
        slot == Slot::Idle,
{
    match request.refusal {
        Some(e) => (code_of_error(e), slot),
        None => if request.immediate {
            (1, Slot::Ready { outcome: request.outcome })
        } else {
            (0, Slot::Pending { outcome: request.outcome })
        },
    }
}

/// A scheduling slice goes by: a call that was pending has its outcome.
pub open spec fn slot_slice(slot: Slot) -> Slot {
    match slot {
        Slot::Pending { outcome } => Slot::Ready { outcome },
        other => other,
    }
}

/// The host is asked for the result of the call, with room for `capacity` bytes, or with no
/// buffer at all where only the length is asked for: the status that it answers, and the slot
/// afterwards. The call leaves the slot when its result has been written or its failure
/// reported.
pub open spec fn slot_end(slot: Slot, capacity: Option<nat>) -> (int, Slot) {
    match slot {
        Slot::Ready { outcome: Ok(bytes) } => match capacity {
            None => (bytes.len() as int, slot),
            Some(room) => if bytes.len() <= room {
                (bytes.len() as int, Slot::Idle)
            } else {
                (code_of_error(Error::BufferTooShort), slot)
            },
        },
        Slot::Ready { outcome: Err(e) } => (code_of_error(e), Slot::Idle),
        _ => (code_of_error(Error::QueueEmpty), slot),
    }
}

/// The host is told to discard the call.
pub open spec fn slot_cancel(slot: Slot) -> Slot {
    Slot::Idle
}

/// The status that the host answers to a start means to the guest what the host did: a refusal
/// is the error, and an accepted call is complete exactly if its outcome is ready.
pub proof fn lemma_start(request: StartRequest)
    requires
        request.valid(),
    ensures
        ({
            let (status, slot) = slot_start(Slot::Idle, request);
            &&& !is_fatal_code(status)
            &&& match request.refusal {
                Some(e) => start_outcome(status) == Err::<InvokeResult, Error>(e) && slot
                    == Slot::Idle,
                None => if request.immediate {
                    start_outcome(status) == Ok::<InvokeResult, Error>(InvokeResult::Complete)
                        && slot == (Slot::Ready { outcome: request.outcome })
                } else {
                    start_outcome(status) == Ok::<InvokeResult, Error>(InvokeResult::Incomplete)
                        && slot == (Slot::Pending { outcome: request.outcome })
                },
            }
        }),
{
    if let Some(e) = request.refusal {
        lemma_code_round_trip(e);
    }
}

/// A call whose start reports that it is complete can be fetched at once, with no poll in
/// between: given a buffer that holds the result, the fetch is done, with the length of the
/// result or the failure of the call, and the slot is free.
pub proof fn lemma_complete_then_fetch(request: StartRequest, room: nat)
    requires
        request.valid(),
        start_outcome(slot_start(Slot::Idle, request).0) == Ok::<InvokeResult, Error>(
            InvokeResult::Complete,
        ),
        request.outcome matches Ok(bytes) ==> bytes.len() <= room,
    ensures
        ({
            let (_, started) = slot_start(Slot::Idle, request);
            let (status, ended) = slot_end(started, Some(room));
            &&& !is_fatal_code(status)
            &&& end_outcome(status) == EndOutcome::Done(fetched(request.outcome))
            &&& ended == Slot::Idle
        }),
{
    lemma_start(request);
    if let Err(e) = request.outcome {
        lemma_code_round_trip(e);
    }
}

/// A call whose start reports that it is incomplete, and which is fetched at once, is pending:
/// the guest sees no result, whatever the buffer, and the host keeps the call as it was.
pub proof fn lemma_incomplete_then_fetch(request: StartRequest, capacity: Option<nat>)
    requires
        request.valid(),
        start_outcome(slot_start(Slot::Idle, request).0) == Ok::<InvokeResult, Error>(
            InvokeResult::Incomplete,
        ),
    ensures
        ({
            let (_, started) = slot_start(Slot::Idle, request);
            let (status, ended) = slot_end(started, capacity);
            &&& !is_fatal_code(status)
            &&& end_outcome(status) == EndOutcome::Pending
            &&& end_length_outcome(status) == EndOutcome::Pending
            &&& ended == started
        }),
{
    lemma_start(request);
}

/// Once a slice has gone by, a call that was pending can be fetched like one that was complete
/// from the start.
pub proof fn lemma_slice_then_fetch(outcome: Outcome, room: nat)
    requires
        outcome_valid(outcome),
        outcome matches Ok(bytes) ==> bytes.len() <= room,
    ensures
        ({
            let (status, ended) = slot_end(slot_slice(Slot::Pending { outcome }), Some(room));
            &&& !is_fatal_code(status)
            &&& end_outcome(status) == EndOutcome::Done(fetched(outcome))
            &&& ended == Slot::Idle
        }),
{
    if let Err(e) = outcome {
        lemma_code_round_trip(e);
    }
}

/// A fetch into a buffer that is too short says so and loses nothing: the host keeps the call,
/// a request for the length reports the length of the result and keeps the call too, and a
/// fetch into a buffer of that length is done.
pub proof fn lemma_short_buffer_then_retry(bytes: Seq<u8>, room: nat)
    requires
        outcome_valid(Ok(bytes)),
        room < bytes.len(),
    ensures
        ({
            let ready = Slot::Ready { outcome: Ok(bytes) };
            let (first, kept) = slot_end(ready, Some(room));
            let (asked, still) = slot_end(kept, None);
            let (second, ended) = slot_end(still, Some(asked as nat));
            &&& end_outcome(first) == EndOutcome::BufferTooShort
            &&& kept == ready
            &&& end_length_outcome(asked) == EndOutcome::Done(Ok(bytes.len()))
            &&& still == ready
            &&& end_outcome(second) == EndOutcome::Done(Ok(bytes.len()))
            &&& ended == Slot::Idle
        }),
{
}

/// A call that is given up while it is pending leaves the slot free, and the next start finds
/// the host as a first start would.
pub proof fn lemma_cancel_frees_slot(outcome: Outcome, next: StartRequest)
    ensures
        slot_cancel(Slot::Pending { outcome }) == Slot::Idle,
        slot_start(slot_cancel(Slot::Pending { outcome }), next) == slot_start(Slot::Idle, next),
{
}

/// A method as the host lists it.
pub struct Method {
    /// The name of the method, in UTF-8.
    pub name: Seq<u8>,
    /// The bit mask of the method's attributes.
    pub attributes: u32,
}

/// Whether every method has a name: the host answers 0 for the end of the listing, so that no
/// name can be empty.
pub open spec fn methods_valid(methods: Seq<Method>) -> bool {
    forall|i: int| 0 <= i < methods.len() ==> 0 < (#[trigger] methods[i]).name.len() <= isize::MAX
}

/// What the host answers to a request for the next method, and what it leaves behind.
pub struct MethodsNext {
    /// The status.
    pub status: int,
    /// The bit mask of attributes that the host reports.
    pub attributes: u32,
    /// The buffer as the host leaves it.
    pub buffer: Seq<u8>,
    /// The methods that are still to be listed.
    pub remaining: Seq<Method>,
}

/// The host is asked for the next method of a listing of which `remaining` are left, with
/// `buffer` to write the name into. It moves on only where it has written the name.
pub open spec fn methods_next(remaining: Seq<Method>, buffer: Seq<u8>) -> MethodsNext {
    if remaining.len() == 0 {
        MethodsNext { status: 0, attributes: 0, buffer, remaining }
    } else if remaining[0].name.len() > buffer.len() {
        MethodsNext {
            status: code_of_error(Error::BufferTooShort),
            attributes: 0,
            buffer,
            remaining,
        }
    } else {
        MethodsNext {
            status: remaining[0].name.len() as int,
            attributes: remaining[0].attributes,
            buffer: remaining[0].name + buffer.subrange(
                remaining[0].name.len() as int,
                buffer.len() as int,
            ),
            remaining: remaining.drop_first(),
        }
    }
}

/// What is left of a method listing after one request for each of `buffers`, in order.
pub open spec fn methods_after(remaining: Seq<Method>, buffers: Seq<Seq<u8>>) -> Seq<Method>
    decreases buffers.len(),
{
    if buffers.len() == 0 {
        remaining
    } else {
        methods_after(methods_next(remaining, buffers[0]).remaining, buffers.drop_first())
    }
}

/// What the guest makes of the host's answer to a request for the next method.
pub open spec fn methods_advance(remaining: Seq<Method>, buffer: Seq<u8>) -> Result<
    Option<(Seq<u8>, MethodAttributes)>,
    Error,
> {
    let answer = methods_next(remaining, buffer);
    methods_next_outcome(answer.status, answer.attributes, answer.buffer)
}

/// A method listing that is exhausted stays so: however often the guest asks again, and with
/// whatever buffers, the answer is that there is no next method, and never an error.
pub proof fn lemma_methods_exhausted(buffers: Seq<Seq<u8>>, buffer: Seq<u8>)
    ensures
        methods_after(Seq::empty(), buffers) == Seq::<Method>::empty(),
        methods_advance(methods_after(Seq::empty(), buffers), buffer) == Ok::<
            Option<(Seq<u8>, MethodAttributes)>,
            Error,
        >(None),
    decreases buffers.len(),
{
    if buffers.len() > 0 {
        lemma_methods_exhausted(buffers.drop_first(), buffer);
    }
}

/// A request for the next method with a buffer that cannot hold its name says so and does not
/// use the method up: the next request with a buffer that can hold the name gives that same
/// method, with its attributes, and only then does the listing move on.
pub proof fn lemma_methods_short_buffer(remaining: Seq<Method>, small: Seq<u8>, large: Seq<u8>)
    requires
        methods_valid(remaining),
        remaining.len() > 0,
        small.len() < remaining[0].name.len() <= large.len(),
    ensures
        methods_advance(remaining, small) == Err::<Option<(Seq<u8>, MethodAttributes)>, Error>(
            Error::BufferTooShort,
        ),
        methods_next(remaining, small).remaining == remaining,
        methods_advance(methods_next(remaining, small).remaining, large) == Ok::<
            Option<(Seq<u8>, MethodAttributes)>,
            Error,
        >(Some((remaining[0].name, attributes_of_bits(remaining[0].attributes)))),
        methods_next(methods_next(remaining, small).remaining, large).remaining
            == remaining.drop_first(),
{
    let answer = methods_next(remaining, large);
    assert(answer.buffer.subrange(0, answer.status) =~= remaining[0].name);
}

/// The count that a method listing keeps is in step with the host. Where the host lists
/// `methods` and the listing has handed out the first `position` of them, the host has the rest
/// of them left. After one more request, whatever the buffer, that holds again: the listing
/// hands out the method at its position and counts it, or hands out nothing and counts nothing.
pub proof fn lemma_methods_position(methods: Seq<Method>, position: nat, buffer: Seq<u8>)
    requires
        methods_valid(methods),
        position <= methods.len(),
    ensures
        ({
            let answer = methods_next(methods.skip(position as int), buffer);
            let after = methods_position_after(position, answer.status);
            &&& after <= methods.len()
            &&& answer.remaining == methods.skip(after as int)
            &&& after == position + 1 ==> methods_advance(methods.skip(position as int), buffer)
                == Ok::<Option<(Seq<u8>, MethodAttributes)>, Error>(
                Some(
                    (
                        methods[position as int].name,
                        attributes_of_bits(methods[position as int].attributes),
                    ),
                ),
            )
            &&& after == position ==> !(methods_advance(methods.skip(position as int), buffer)
                matches Ok(Some(_)))
        }),
{
    let rest = methods.skip(position as int);
    let answer = methods_next(rest, buffer);
    if position < methods.len() {
        assert(rest[0] == methods[position as int]);
        if rest[0].name.len() <= buffer.len() {
            assert(answer.remaining =~= methods.skip(position as int + 1));
            assert(answer.buffer.subrange(0, answer.status) =~= rest[0].name);
        }
    }
}

/// What the host answers to a request for the next component, and what it leaves behind.
pub struct ListNext {
    /// The status.
    pub status: int,
    /// The buffer of sixteen bytes as the host leaves it.
    pub buffer: Seq<u8>,
    /// The addresses that are still to be listed.
    pub remaining: Seq<Seq<u8>>,
}

/// The host is asked for the next component of a listing of which the addresses `remaining` are
/// left, with `buffer` to write the address into.
pub open spec fn list_next(remaining: Seq<Seq<u8>>, buffer: Seq<u8>) -> ListNext {
    if remaining.len() == 0 {
        ListNext { status: 0, buffer, remaining }
    } else {
        ListNext { status: 1, buffer: remaining[0], remaining: remaining.drop_first() }
    }
}

/// What is left of a component listing after `requests` requests for the next component.
pub open spec fn list_after(remaining: Seq<Seq<u8>>, requests: nat) -> Seq<Seq<u8>>
    decreases requests,
{
    if requests == 0 {
        remaining
    } else {
        list_after(list_next(remaining, Seq::empty()).remaining, (requests - 1) as nat)
    }
}

/// What the guest makes of the host's answer to a request for the next component.
pub open spec fn list_advance(remaining: Seq<Seq<u8>>, buffer: Seq<u8>) -> Option<Seq<u8>> {
    let answer = list_next(remaining, buffer);
    list_next_outcome(answer.status, answer.buffer)
}

/// A component listing hands out the addresses in order, one for each request.
pub proof fn lemma_list_in_order(remaining: Seq<Seq<u8>>, buffer: Seq<u8>)
    requires
        remaining.len() > 0,
    ensures
        list_advance(remaining, buffer) == Some(remaining[0]),
        list_next(remaining, buffer).remaining == remaining.drop_first(),
{
}

/// A component listing that is exhausted stays so: however often the guest asks again, the
/// answer is that there is no next component.
pub proof fn lemma_list_exhausted(requests: nat, buffer: Seq<u8>)
    ensures
        list_after(Seq::empty(), requests) == Seq::<Seq<u8>>::empty(),
        list_advance(list_after(Seq::empty(), requests), buffer).is_none(),
    decreases requests,
{
    if requests > 0 {
        lemma_list_exhausted((requests - 1) as nat, buffer);
    }
}

/// The count that a component listing keeps is in step with the host. Where the host lists
/// the components at `addresses` and the listing has handed out the first `position` of them,
/// the host has the rest of them left. After one more request that holds again: the listing
/// hands out the address at its position and counts it, or it has come to the end, hands out
/// nothing and counts nothing.
pub proof fn lemma_list_position(addresses: Seq<Seq<u8>>, position: nat, buffer: Seq<u8>)
    requires
        position <= addresses.len(),
    ensures
        ({
            let answer = list_next(addresses.skip(position as int), buffer);
            let after = list_position_after(position, answer.status);
            &&& after <= addresses.len()
            &&& answer.remaining == addresses.skip(after as int)
            &&& position < addresses.len() ==> after == position + 1 && list_advance(
                addresses.skip(position as int),
                buffer,
            ) == Some(addresses[position as int])
            &&& position == addresses.len() ==> after == position && list_advance(
                addresses.skip(position as int),
                buffer,
            ).is_none()
        }),
{
    let rest = addresses.skip(position as int);
    let answer = list_next(rest, buffer);
    if position < addresses.len() {
        assert(rest[0] == addresses[position as int]);
        assert(answer.remaining =~= addresses.skip(position as int + 1));
    }
}

/// The host's table of descriptors: which descriptors are open, and which opaque value each of
/// them stands for.
pub struct Table {
    /// The opaque value behind each open descriptor.
    pub entries: Map<u32, nat>,
    /// The number of descriptors that the table has room for.
    pub capacity: nat,
}

/// Whether the host may answer a request to duplicate the open descriptor `descriptor` with
/// `status` and leave the table `after`. Where the table is full it refuses and changes
/// nothing. Otherwise it picks a descriptor that is not open, whichever it likes, and lets it
/// stand for the same opaque value.
pub open spec fn table_dup(table: Table, descriptor: u32, status: int, after: Table) -> bool
    recommends
        table.entries.contains_key(descriptor),
{
    if table.entries.len() >= table.capacity {
        status == code_of_error(Error::TooManyDescriptors) && after == table
    } else {
        &&& 0 <= status <= i32::MAX
        &&& !table.entries.contains_key(status as u32)
        &&& after == Table {
            entries: table.entries.insert(status as u32, table.entries[descriptor]),
            ..table
        }
    }
}

/// The host is told to close a descriptor.
pub open spec fn table_close(table: Table, descriptor: u32) -> Table {
    Table { entries: table.entries.remove(descriptor), ..table }
}

/// The lives of a descriptor and of its duplicate are independent. Where the host has granted
/// the duplicate, the guest owns a descriptor other than the first, and once the first has
/// been released the duplicate is still open and stands for the same opaque value, while the
/// first is closed.
pub proof fn lemma_dup_then_release(table: Table, first: u32, status: int, after: Table)
    requires
        table.entries.contains_key(first),
        table_dup(table, first, status, after),
        status >= 0,
    ensures
        dup_outcome(status) matches Ok(duplicate) && duplicate != first && ({
            let released = table_close(after, first);
            &&& released.entries.contains_key(duplicate)
            &&& released.entries[duplicate] == table.entries[first]
            &&& !released.entries.contains_key(first)
        }),
{
}

/// Where the host refuses a duplicate, the guest learns that the table is full, and the
/// first descriptor is as it was.
pub proof fn lemma_dup_refused(table: Table, first: u32, status: int, after: Table)
    requires
        table.entries.contains_key(first),
        table_dup(table, first, status, after),
        status < 0,
    ensures
        dup_outcome(status) == Err::<u32, Error>(Error::TooManyDescriptors),
        after == table,
{
}

} // verus!
