//! What holds of every acquisition, whatever the caller reports.
use crate::errors::{DegitError, FetchError};
use crate::git::{
    cloned_phase, next_phase, pending_action, phase_after, phase_is_sound, ssh_phase, Action,
    CloneRequest, Event, Phase, Plan, Transport,
};
use vstd::prelude::*;

verus! {

/// How far along a phase is. Every change of phase moves to a higher rank.
pub open spec fn rank(phase: Phase) -> nat {
    match phase {
        Phase::Probing => 0,
        Phase::CloningHttps => 1,
        Phase::CloningSsh { .. } => 2,
        Phase::Resolving { .. } => 3,
        Phase::CheckingOut { .. } => 4,
        Phase::SettingHead { .. } => 5,
        Phase::ListingTags => 6,
        Phase::Cleaning { .. } => 7,
        Phase::Finished { .. } => 8,
    }
}

/// The request that differs from `request` only in that it goes straight to
/// SSH.
pub open spec fn over_ssh_only(request: CloneRequest) -> CloneRequest {
    CloneRequest { transport: Transport::Ssh, ..request }
}

/// An event either leaves the phase as it is or moves it forward, so no
/// step is ever taken twice: there is one HTTPS attempt and one SSH attempt
/// at most, and after eight changes at the latest the acquisition is
/// finished.
pub proof fn lemma_every_change_moves_forward(
    request: CloneRequest,
    plan: Plan,
    phase: Phase,
    event: Event,
)
    ensures
        next_phase(request, plan, phase, event) == phase || rank(
            next_phase(request, plan, phase, event),
        ) > rank(phase),
        rank(phase) <= 8,
{
}

/// A finished acquisition stays finished, with the same outcome.
pub proof fn lemma_finished_is_final(
    request: CloneRequest,
    plan: Plan,
    outcome: Result<Option<String>, FetchError>,
    events: Seq<Event>,
)
    ensures
        phase_after(request, plan, Phase::Finished { outcome }, events) == (Phase::Finished {
            outcome,
        }),
    decreases events.len(),
{
    if events.len() > 0 {
        lemma_finished_is_final(request, plan, outcome, events.drop_first());
    }
}

/// Where the target path exists already, the acquisition is over at once
/// and succeeds without naming a version: the only action ever asked for is
/// the look at the target path, whatever else is reported afterwards.
pub proof fn lemma_existing_target_is_left_alone(
    request: CloneRequest,
    plan: Plan,
    events: Seq<Event>,
)
    requires
        events.len() > 0,
        events[0] == (Event::TargetProbed { exists: true }),
    ensures
        pending_action(request, Phase::Probing) == (Action::ProbeTarget {
            path: request.target_path,
        }),
        phase_after(request, plan, Phase::Probing, events) == (Phase::Finished {
            outcome: Ok(None),
        }),
        pending_action(request, phase_after(request, plan, Phase::Probing, events))
            == Action::Done,
{
    lemma_finished_is_final(request, plan, Ok(None), events.drop_first());
}

/// A failed HTTPS attempt is never reported. Where the source has an SSH
/// form, the next action is a clone from exactly that remote, under the same
/// branch restriction; a clone that then succeeds is followed by what would
/// have followed a successful HTTPS clone.
pub proof fn lemma_https_failure_falls_back_to_ssh(
    request: CloneRequest,
    plan: Plan,
    reason: String,
    url: String,
)
    requires
        request.ssh_source == Ok::<String, crate::errors::UrlError>(url),
    ensures
        next_phase(request, plan, Phase::CloningHttps, Event::CloneFailed(reason)) == (
        Phase::CloningSsh { url }),
        pending_action(request, Phase::CloningSsh { url }) == (Action::CloneSsh {
            url,
            branch: request.branch,
        }),
        next_phase(request, plan, Phase::CloningSsh { url }, Event::Cloned) == next_phase(
            request,
            plan,
            Phase::CloningHttps,
            Event::Cloned,
        ),
{
}

/// Once the first look at the target path is over, it makes no difference
/// whether the request allowed HTTPS.
proof fn lemma_transport_matters_at_the_probe_only(
    request: CloneRequest,
    plan: Plan,
    phase: Phase,
    events: Seq<Event>,
)
    requires
        !(phase is Probing),
    ensures
        phase_after(request, plan, phase, events) == phase_after(
            over_ssh_only(request),
            plan,
            phase,
            events,
        ),
    decreases events.len(),
{
    if events.len() > 0 {
        let direct = over_ssh_only(request);
        assert(ssh_phase(request) == ssh_phase(direct));
        assert(next_phase(request, plan, phase, events[0]) == next_phase(
            direct,
            plan,
            phase,
            events[0],
        ));
        lemma_transport_matters_at_the_probe_only(
            request,
            plan,
            next_phase(request, plan, phase, events[0]),
            events.drop_first(),
        );
    }
}

/// An acquisition whose HTTPS attempt fails goes on exactly as one that was
/// asked to use SSH alone: whatever is reported from then on, both ask for
/// the same actions and end the same way.
pub proof fn lemma_fallback_goes_on_as_an_ssh_clone(
    request: CloneRequest,
    plan: Plan,
    reason: String,
    rest: Seq<Event>,
)
    requires
        request.transport == Transport::HttpsThenSsh,
    ensures
        phase_after(
            request,
            plan,
            Phase::Probing,
            seq![Event::TargetProbed { exists: false }, Event::CloneFailed(reason)] + rest,
        ) == phase_after(
            over_ssh_only(request),
            plan,
            Phase::Probing,
            seq![Event::TargetProbed { exists: false }] + rest,
        ),
        forall|phase: Phase| #[trigger]
            pending_action(request, phase) == pending_action(over_ssh_only(request), phase),
{
    let direct = over_ssh_only(request);
    let absent = Event::TargetProbed { exists: false };
    let failed = Event::CloneFailed(reason);
    let through_https = seq![absent, failed] + rest;
    let through_ssh = seq![absent] + rest;
    assert(through_https.drop_first() == seq![failed] + rest);
    assert(through_https.drop_first().drop_first() == rest);
    assert(through_ssh.drop_first() == rest);
    assert(ssh_phase(request) == ssh_phase(direct));
    let start = ssh_phase(request);
    assert(phase_after(request, plan, Phase::Probing, through_https) == phase_after(
        request,
        plan,
        start,
        rest,
    )) by {
        assert(next_phase(request, plan, Phase::Probing, absent) == Phase::CloningHttps);
        assert(next_phase(request, plan, Phase::CloningHttps, failed) == start);
        assert(phase_after(request, plan, Phase::Probing, through_https) == phase_after(
            request,
            plan,
            Phase::CloningHttps,
            through_https.drop_first(),
        ));
        assert(phase_after(request, plan, Phase::CloningHttps, through_https.drop_first())
            == phase_after(request, plan, start, through_https.drop_first().drop_first()));
    }
    assert(phase_after(direct, plan, Phase::Probing, through_ssh) == phase_after(
        direct,
        plan,
        start,
        rest,
    )) by {
        assert(next_phase(direct, plan, Phase::Probing, absent) == start);
    }
    lemma_transport_matters_at_the_probe_only(request, plan, start, rest);
}

/// A clone failure is reported only when the SSH attempt has failed, and
/// then with exactly what the SSH transport reported.
pub proof fn lemma_clone_failure_is_the_ssh_failure(
    request: CloneRequest,
    plan: Plan,
    phase: Phase,
    event: Event,
    reason: String,
)
    requires
        !(phase is Finished),
        next_phase(request, plan, phase, event) == (Phase::Finished {
            outcome: Err(FetchError::CloneFailed(reason)),
        }),
    ensures
        phase is CloningSsh,
        event == Event::CloneFailed(reason),
{
}

/// The metadata is removed only once the head has been set after a
/// checkout, or once the tags of an untouched clone have been listed.
pub proof fn lemma_cleanup_follows_checkout(
    request: CloneRequest,
    plan: Plan,
    phase: Phase,
    event: Event,
)
    requires
        !(phase is Cleaning),
        next_phase(request, plan, phase, event) is Cleaning,
    ensures
        (phase is SettingHead && event is HeadSet) || (phase is ListingTags && event
            is TagsListed),
        pending_action(request, phase) != Action::RemoveMetadata,
{
}

/// Where the revision asked for is not in the clone, the acquisition ends
/// with that error and the metadata is never asked to be removed, whatever
/// is reported afterwards.
pub proof fn lemma_missing_revision_keeps_metadata(
    request: CloneRequest,
    plan: Plan,
    revision: String,
    rest: Seq<Event>,
)
    ensures
        phase_after(
            request,
            plan,
            Phase::Resolving { revision },
            seq![Event::RevisionNotFound] + rest,
        ) == (Phase::Finished { outcome: Err(FetchError::Degit(DegitError::RevisionNotFound)) }),
        pending_action(
            request,
            phase_after(
                request,
                plan,
                Phase::Resolving { revision },
                seq![Event::RevisionNotFound] + rest,
            ),
        ) == Action::Done,
{
    let events = seq![Event::RevisionNotFound] + rest;
    assert(events.drop_first() == rest);
    lemma_finished_is_final(
        request,
        plan,
        Err(FetchError::Degit(DegitError::RevisionNotFound)),
        rest,
    );
}

/// No event leads into a checkout of the default branch tip.
pub proof fn lemma_sound_phase_stays_sound(
    request: CloneRequest,
    plan: Plan,
    phase: Phase,
    event: Event,
)
    requires
        phase_is_sound(phase),
    ensures
        phase_is_sound(next_phase(request, plan, phase, event)),
        phase_is_sound(cloned_phase(plan)),
        phase_is_sound(ssh_phase(request)),
{
}

} // verus!
