//! Runs: what the reconciler is handed, step after step, and what holds of
//! every run.

use vstd::prelude::*;
use crate::client::{
    all_skipped, answer, begin, families_after, family_done, first_record, from_family,
    matches_desired, with_address, Addresses, ClientView, JobView, PendingView,
};
use crate::config::SubdomainsView;
use crate::record::{record_type, Outcome, ProgressView, ReplyView, RequestView};
use crate::util::{ip_of, IP};

verus! {

/// What the reconciler is handed in one step.
pub ghost enum Input {
    /// A hostname to reconcile, with its settings.
    Begin { name: Seq<char>, entry: SubdomainsView },
    /// The answer to the request that was asked last.
    Answer(ReplyView),
}

/// The state and the step that follow an input.
pub open spec fn step(client: ClientView, input: Input) -> (ClientView, ProgressView) {
    match input {
        Input::Begin { name, entry } => begin(client, name, entry),
        Input::Answer(reply) => answer(client, reply),
    }
}

/// The state after some inputs, handed in one after the other.
pub open spec fn state_after(client: ClientView, inputs: Seq<Input>) -> ClientView
    decreases inputs.len(),
{
    if inputs.len() == 0 {
        client
    } else {
        step(state_after(client, inputs.drop_last()), inputs.last()).0
    }
}

/// What the reconciler says to the input at position `i` of a run.
pub open spec fn said_at(client: ClientView, inputs: Seq<Input>, i: int) -> ProgressView {
    step(state_after(client, inputs.take(i)), inputs[i]).1
}

/// Whether an input is the base domain of a zone.
pub open spec fn gives_zone_name(input: Input) -> bool {
    input matches Input::Answer(ReplyView::ZoneName(_))
}

/// Whether an input is an answer of the echo service that holds the public
/// address of a family.
pub open spec fn gives_address(input: Input, version: IP) -> bool {
    input matches Input::Answer(ReplyView::Trace(fetched)) && ip_of(version, fetched) is Ok
}

/// Whether a step of the families asks for nothing that is remembered, and
/// waits for what it asks. It neither asks nor waits for a zone's base
/// domain. Where it asks for the public address of a family, it waits for
/// that answer; and it waits for such an answer only where no address is
/// remembered for the family.
pub open spec fn asks_past_memo(addresses: Addresses, next: (PendingView, ProgressView)) -> bool {
    &&& match next.1 {
        ProgressView::Ask(RequestView::ZoneDetails { .. }) => false,
        ProgressView::Ask(RequestView::PublicIp { version }) => next.0 matches PendingView::Address {
            version: awaited,
            ..
        } && awaited == version,
        _ => true,
    }
    &&& match next.0 {
        PendingView::Zone { .. } => false,
        PendingView::Address { version, .. } => addresses.of(version) is None,
        _ => true,
    }
}

proof fn lemma_from_family(addresses: Addresses, job: JobView, version: IP)
    ensures
        asks_past_memo(addresses, from_family(addresses, job, version)),
    decreases families_after(version), 2nat,
{
    if !job.settings.wants(version) {
        lemma_family_done(addresses, job.with(version, Outcome::Skipped), version);
    } else if let Some(address) = addresses.of(version) {
        lemma_with_address(addresses, job, version, address);
    }
}

proof fn lemma_with_address(addresses: Addresses, job: JobView, version: IP, address: Seq<char>)
    ensures
        asks_past_memo(addresses, with_address(addresses, job, version, address)),
    decreases families_after(version), 1nat,
{
    if let Some(record) = first_record(job.records, record_type(version)) {
        if matches_desired(record, job.settings, address) {
            lemma_family_done(addresses, job.with(version, Outcome::Unchanged), version);
        }
    }
}

proof fn lemma_family_done(addresses: Addresses, job: JobView, version: IP)
    ensures
        asks_past_memo(addresses, family_done(addresses, job, version)),
    decreases families_after(version), 0nat,
{
    if version == IP::V4 {
        lemma_from_family(addresses, job, IP::V6);
    }
}

/// No step asks for what is remembered: a zone's base domain is asked for
/// only where the zone is not remembered, and the public address of a family
/// only where none is remembered for it.
pub proof fn lemma_step_asks_past_memo(client: ClientView, input: Input)
    ensures
        forall|zone_id: Seq<char>|
            step(client, input).1 == ProgressView::Ask(RequestView::ZoneDetails { zone_id })
                ==> !client.zones.contains_key(zone_id),
        forall|version: IP|
            step(client, input).1 == ProgressView::Ask(RequestView::PublicIp { version }) ==> {
                &&& step(client, input).0.addresses.of(version) is None
                &&& step(client, input).0.pending matches PendingView::Address {
                    version: awaited,
                    ..
                } && awaited == version
            },
        forall|zone_id: Seq<char>|
            step(client, input).1 == ProgressView::Ask(RequestView::ZoneDetails { zone_id })
                ==> (step(client, input).0.pending matches PendingView::Zone {
                zone_id: awaited,
                ..
            } && awaited == zone_id),
{
    match input {
        Input::Begin { name, entry } => {},
        Input::Answer(reply) => {
            match (client.pending, reply) {
                (PendingView::Records { zone_id, fqdn, settings }, ReplyView::Records(records)) => {
                    let job = JobView {
                        zone_id,
                        fqdn,
                        settings,
                        records,
                        outcomes: all_skipped(),
                    };
                    lemma_from_family(client.addresses, job, IP::V4);
                },
                (PendingView::Address { job, version }, ReplyView::Trace(fetched)) => {
                    if let Ok(address) = ip_of(version, fetched) {
                        lemma_with_address(
                            client.addresses.with(version, address),
                            job,
                            version,
                            address,
                        );
                    }
                },
                (PendingView::Write { job, version, outcome }, ReplyView::Written) => {
                    lemma_family_done(client.addresses, job.with(version, outcome), version);
                },
                _ => {},
            }
        },
    }
}

/// A step forgets nothing: a zone or a family that is remembered before it
/// is remembered after it.
pub proof fn lemma_step_keeps_memo(client: ClientView, input: Input)
    ensures
        forall|zone_id: Seq<char>|
            client.zones.contains_key(zone_id) ==> step(client, input).0.zones.contains_key(
                zone_id,
            ),
        forall|version: IP|
            client.addresses.of(version) is Some ==> step(client, input).0.addresses.of(version)
                is Some,
{
}

/// A run forgets nothing.
pub proof fn lemma_run_keeps_memo(client: ClientView, inputs: Seq<Input>, upto: int)
    requires
        0 <= upto <= inputs.len(),
    ensures
        forall|zone_id: Seq<char>|
            state_after(client, inputs.take(upto)).zones.contains_key(zone_id) ==> state_after(
                client,
                inputs,
            ).zones.contains_key(zone_id),
        forall|version: IP|
            state_after(client, inputs.take(upto)).addresses.of(version) is Some ==> state_after(
                client,
                inputs,
            ).addresses.of(version) is Some,
    decreases inputs.len() - upto,
{
    if upto == inputs.len() {
        assert(inputs.take(upto) =~= inputs);
    } else {
        let shorter = inputs.drop_last();
        assert(shorter.take(upto) =~= inputs.take(upto));
        lemma_run_keeps_memo(client, shorter, upto);
        lemma_step_keeps_memo(state_after(client, shorter), inputs.last());
    }
}

/// The states of a run follow one another by steps.
proof fn lemma_state_after_step(client: ClientView, inputs: Seq<Input>, i: int)
    requires
        0 <= i < inputs.len(),
    ensures
        state_after(client, inputs.take(i + 1)) == step(
            state_after(client, inputs.take(i)),
            inputs[i],
        ).0,
{
    let upto = inputs.take(i + 1);
    assert(upto.drop_last() =~= inputs.take(i));
    assert(upto.last() == inputs[i]);
}

/// A zone's base domain is looked up at most once with success in a run:
/// once the provider has given it, no later step asks for it again, however
/// many hostnames share the zone. A lookup that failed is not remembered, and
/// may be made again.
pub proof fn law_zone_is_looked_up_once(
    client: ClientView,
    inputs: Seq<Input>,
    i: int,
    j: int,
    zone_id: Seq<char>,
)
    requires
        0 <= i < j < inputs.len(),
        said_at(client, inputs, i) == ProgressView::Ask(RequestView::ZoneDetails { zone_id }),
        gives_zone_name(inputs[i + 1]),
    ensures
        said_at(client, inputs, j) != ProgressView::Ask(RequestView::ZoneDetails { zone_id }),
{
    let asking = state_after(client, inputs.take(i));
    lemma_step_asks_past_memo(asking, inputs[i]);
    lemma_state_after_step(client, inputs, i);
    let waiting = state_after(client, inputs.take(i + 1));
    lemma_state_after_step(client, inputs, i + 1);
    let knowing = state_after(client, inputs.take(i + 2));
    assert(knowing.zones.contains_key(zone_id));
    if j == i + 1 {
        assert(said_at(client, inputs, j) == step(waiting, inputs[i + 1]).1);
    } else {
        let upto = inputs.take(j);
        assert(upto.take(i + 2) =~= inputs.take(i + 2));
        lemma_run_keeps_memo(client, upto, i + 2);
        assert(state_after(client, upto).zones.contains_key(zone_id));
        lemma_step_asks_past_memo(state_after(client, upto), inputs[j]);
    }
}

/// The public address of a family is looked up at most once with success in
/// a run: once the echo service has given it, no later step asks for it
/// again, whichever hostname is in work. A lookup that failed is not
/// remembered, and may be made again.
pub proof fn law_address_is_looked_up_once(
    client: ClientView,
    inputs: Seq<Input>,
    i: int,
    j: int,
    version: IP,
)
    requires
        0 <= i < j < inputs.len(),
        said_at(client, inputs, i) == ProgressView::Ask(RequestView::PublicIp { version }),
        gives_address(inputs[i + 1], version),
    ensures
        said_at(client, inputs, j) != ProgressView::Ask(RequestView::PublicIp { version }),
{
    let asking = state_after(client, inputs.take(i));
    lemma_step_asks_past_memo(asking, inputs[i]);
    lemma_state_after_step(client, inputs, i);
    let waiting = state_after(client, inputs.take(i + 1));
    lemma_state_after_step(client, inputs, i + 1);
    let knowing = state_after(client, inputs.take(i + 2));
    assert(knowing.addresses.of(version) is Some);
    if j == i + 1 {
        lemma_step_asks_past_memo(waiting, inputs[i + 1]);
        assert(said_at(client, inputs, j) == step(waiting, inputs[i + 1]).1);
    } else {
        let upto = inputs.take(j);
        assert(upto.take(i + 2) =~= inputs.take(i + 2));
        lemma_run_keeps_memo(client, upto, i + 2);
        lemma_step_keeps_memo(state_after(client, upto), inputs[j]);
        lemma_step_asks_past_memo(state_after(client, upto), inputs[j]);
    }
}

/// Every step keeps the state well-formed.
pub proof fn lemma_step_keeps_wf(client: ClientView, input: Input)
    requires
        client.wf(),
    ensures
        step(client, input).0.wf(),
{
    match input {
        Input::Begin { name, entry } => {},
        Input::Answer(reply) => {
            match (client.pending, reply) {
                (PendingView::Records { zone_id, fqdn, settings }, ReplyView::Records(records)) => {
                    let job = JobView { zone_id, fqdn, settings, records, outcomes: all_skipped() };
                    lemma_from_family(client.addresses, job, IP::V4);
                },
                (PendingView::Address { job, version }, ReplyView::Trace(fetched)) => {
                    if let Ok(address) = ip_of(version, fetched) {
                        lemma_with_address(
                            client.addresses.with(version, address),
                            job,
                            version,
                            address,
                        );
                    }
                },
                (PendingView::Write { job, version, outcome }, ReplyView::Written) => {
                    lemma_family_done(client.addresses, job.with(version, outcome), version);
                },
                _ => {},
            }
        },
    }
}

/// A step changes nothing that is remembered.
pub proof fn lemma_step_keeps_values(client: ClientView, input: Input)
    requires
        client.wf(),
    ensures
        forall|zone_id: Seq<char>| #[trigger]
            client.zones.contains_key(zone_id) ==> step(client, input).0.zones.contains_key(
                zone_id,
            ) && step(client, input).0.zones[zone_id] == client.zones[zone_id],
        forall|version: IP|
            (#[trigger] client.addresses.of(version)) is Some ==> step(
                client,
                input,
            ).0.addresses.of(version) == client.addresses.of(version),
{
}

/// What is remembered stays as it is for the rest of the run: a zone keeps
/// the base domain that was first given for it, and a family keeps the public
/// address that was first given for it, whatever is answered later.
pub proof fn law_memo_is_stable(client: ClientView, inputs: Seq<Input>, upto: int)
    requires
        client.wf(),
        0 <= upto <= inputs.len(),
    ensures
        state_after(client, inputs).wf(),
        forall|zone_id: Seq<char>| #[trigger]
            state_after(client, inputs.take(upto)).zones.contains_key(zone_id) ==> state_after(
                client,
                inputs,
            ).zones.contains_key(zone_id) && state_after(client, inputs).zones[zone_id]
                == state_after(client, inputs.take(upto)).zones[zone_id],
        forall|version: IP|
            (#[trigger] state_after(client, inputs.take(upto)).addresses.of(version)) is Some
                ==> state_after(client, inputs).addresses.of(version) == state_after(
                client,
                inputs.take(upto),
            ).addresses.of(version),
    decreases inputs.len(),
{
    if inputs.len() > 0 {
        let shorter = inputs.drop_last();
        if upto == inputs.len() {
            assert(inputs.take(upto) =~= inputs);
            law_memo_is_stable(client, shorter, upto - 1);
            lemma_step_keeps_wf(state_after(client, shorter), inputs.last());
        } else {
            assert(shorter.take(upto) =~= inputs.take(upto));
            law_memo_is_stable(client, shorter, upto);
            lemma_step_keeps_wf(state_after(client, shorter), inputs.last());
            lemma_step_keeps_values(state_after(client, shorter), inputs.last());
        }
    } else {
        assert(inputs.take(upto) =~= inputs);
    }
}

} // verus!
