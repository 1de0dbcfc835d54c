//! What a pass of the reconciler achieves, stated against a model of the
//! settings store and the auto-launch service.

use vstd::prelude::*;
use crate::json::JsonMember;
use crate::reconciler::{
    reconcile_step, registration_command, registration_error, ProgressView, ReconcileStage,
    ReconcilerState, ServiceReplyView, SettingsCommandView,
};
use crate::settings::{
    lemma_settings_round_trip, stored_settings, written_members, AppSettingsView,
    SettingsErrorView,
};

verus! {

/// The services as they are outside: the document that the store has saved, if
/// any, and whether the application is registered for auto-launch. They serve
/// to state what a pass of the reconciler achieves; nothing at run time holds
/// them.
pub struct Services {
    pub stored: Option<Map<Seq<char>, JsonMember>>,
    pub registered: bool,
}

/// Which commands the services carry out while a pass runs, and what they say
/// when they do not. A command that is not carried out changes nothing.
pub struct ServiceConditions {
    pub store_opens: bool,
    pub save_works: bool,
    pub status_works: bool,
    pub change_works: bool,
    pub detail: Seq<char>,
}

/// What a command does to the services, and the reply it is answered with.
pub open spec fn serve(
    services: Services,
    conditions: ServiceConditions,
    command: SettingsCommandView,
) -> (Services, ServiceReplyView) {
    match command {
        SettingsCommandView::Store { members } => if !conditions.store_opens {
            (services, ServiceReplyView::Unavailable { detail: conditions.detail })
        } else if !conditions.save_works {
            (services, ServiceReplyView::Failed { detail: conditions.detail })
        } else {
            (
                Services { stored: Some(members), registered: services.registered },
                ServiceReplyView::Done,
            )
        },
        SettingsCommandView::QueryAutoLaunch => if conditions.status_works {
            (services, ServiceReplyView::AutoLaunch { enabled: services.registered })
        } else {
            (services, ServiceReplyView::Failed { detail: conditions.detail })
        },
        SettingsCommandView::EnableAutoLaunch => if conditions.change_works {
            (Services { stored: services.stored, registered: true }, ServiceReplyView::Done)
        } else {
            (services, ServiceReplyView::Failed { detail: conditions.detail })
        },
        SettingsCommandView::DisableAutoLaunch => if conditions.change_works {
            (Services { stored: services.stored, registered: false }, ServiceReplyView::Done)
        } else {
            (services, ServiceReplyView::Failed { detail: conditions.detail })
        },
    }
}

/// How a pass went: its result, the services at its end, and the commands that
/// were given, in order. The result is `None` for a pass that was cut short.
pub struct Pass {
    pub result: Option<Result<(), SettingsErrorView>>,
    pub services: Services,
    pub commands: Seq<SettingsCommandView>,
}

/// Carries out `command` and every command that follows from the replies, at
/// most `limit` commands in all.
pub open spec fn run_pass(
    state: ReconcilerState,
    command: SettingsCommandView,
    services: Services,
    conditions: ServiceConditions,
    limit: nat,
) -> Pass
    decreases limit,
{
    if limit == 0 {
        Pass { result: None, services, commands: Seq::empty() }
    } else {
        let (changed, reply) = serve(services, conditions, command);
        match reconcile_step(state, reply) {
            ProgressView::Finished { result } => Pass {
                result: Some(result),
                services: changed,
                commands: seq![command],
            },
            ProgressView::Perform { command: next, state: next_state } => {
                let rest = run_pass(next_state, next, changed, conditions, (limit - 1) as nat);
                Pass {
                    result: rest.result,
                    services: rest.services,
                    commands: seq![command] + rest.commands,
                }
            },
        }
    }
}

/// Writes `settings` from beginning to end. No pass takes more than three
/// commands.
pub open spec fn write_pass(
    settings: AppSettingsView,
    services: Services,
    conditions: ServiceConditions,
) -> Pass {
    run_pass(
        ReconcilerState { wanted: settings.auto_launch, stage: ReconcileStage::Storing },
        SettingsCommandView::Store { members: written_members(settings) },
        services,
        conditions,
        3,
    )
}

/// Changes the registration to `enabled` from beginning to end.
pub open spec fn registration_pass(
    enabled: bool,
    services: Services,
    conditions: ServiceConditions,
) -> Pass {
    run_pass(
        ReconcilerState { wanted: enabled, stage: ReconcileStage::Applying },
        registration_command(enabled),
        services,
        conditions,
        3,
    )
}

/// Brings the registration in line with `wanted` from beginning to end.
pub open spec fn startup_pass(
    wanted: bool,
    services: Services,
    conditions: ServiceConditions,
) -> Pass {
    run_pass(
        ReconcilerState { wanted, stage: ReconcileStage::Checking },
        SettingsCommandView::QueryAutoLaunch,
        services,
        conditions,
        3,
    )
}

/// Every pass comes to an end within its three commands.
pub proof fn lemma_pass_completes(
    state: ReconcilerState,
    command: SettingsCommandView,
    services: Services,
    conditions: ServiceConditions,
)
    ensures
        run_pass(state, command, services, conditions, 3).result is Some,
{
    reveal_with_fuel(run_pass, 4);
}

/// With services that work, writing stores the settings, so that reading
/// gives them back, and leaves the application registered exactly if the
/// settings say so.
pub proof fn lemma_write_reconciles(
    settings: AppSettingsView,
    services: Services,
    conditions: ServiceConditions,
)
    requires
        conditions.store_opens,
        conditions.save_works,
        conditions.change_works,
    ensures
        ({
            let pass = write_pass(settings, services, conditions);
            &&& pass.result == Some(Ok::<(), SettingsErrorView>(()))
            &&& pass.services.stored == Some(written_members(settings))
            &&& stored_settings(written_members(settings)) == settings
            &&& pass.services.registered == settings.auto_launch
        }),
{
    reveal_with_fuel(run_pass, 4);
    lemma_settings_round_trip(settings);
}

/// A registration that is already what the settings say is left alone.
pub proof fn lemma_write_spares_registration(
    settings: AppSettingsView,
    services: Services,
    conditions: ServiceConditions,
)
    requires
        conditions.store_opens,
        conditions.save_works,
        conditions.status_works,
        services.registered == settings.auto_launch,
    ensures
        write_pass(settings, services, conditions).commands == seq![
            SettingsCommandView::Store { members: written_members(settings) },
            SettingsCommandView::QueryAutoLaunch,
        ],
        write_pass(settings, services, conditions).result == Some(Ok::<(), SettingsErrorView>(())),
{
    reveal_with_fuel(run_pass, 4);
    assert(write_pass(settings, services, conditions).commands =~= seq![
        SettingsCommandView::Store { members: written_members(settings) },
        SettingsCommandView::QueryAutoLaunch,
    ]);
}

/// A store that cannot be opened or saved ends the pass at once: the error
/// goes to the caller, and neither the store nor the registration changes.
pub proof fn lemma_store_failure_ends_pass(
    settings: AppSettingsView,
    services: Services,
    conditions: ServiceConditions,
)
    requires
        !conditions.store_opens || !conditions.save_works,
    ensures
        ({
            let pass = write_pass(settings, services, conditions);
            &&& pass.result == Some(
                Err::<(), SettingsErrorView>(
                    if conditions.store_opens {
                        SettingsErrorView::Save { detail: conditions.detail }
                    } else {
                        SettingsErrorView::OpenStore { detail: conditions.detail }
                    },
                ),
            )
            &&& pass.services == services
            &&& pass.commands.len() == 1
        }),
{
    reveal_with_fuel(run_pass, 4);
}

/// A registration that cannot be changed is reported, and what was stored
/// stays stored: the store and the registration may then disagree.
pub proof fn lemma_registration_failure_keeps_stored(
    settings: AppSettingsView,
    services: Services,
    conditions: ServiceConditions,
)
    requires
        conditions.store_opens,
        conditions.save_works,
        !conditions.change_works,
        !conditions.status_works || services.registered != settings.auto_launch,
    ensures
        ({
            let pass = write_pass(settings, services, conditions);
            &&& pass.result == Some(
                Err::<(), SettingsErrorView>(
                    registration_error(settings.auto_launch, conditions.detail),
                ),
            )
            &&& pass.services.stored == Some(written_members(settings))
            &&& pass.services.registered == services.registered
        }),
{
    reveal_with_fuel(run_pass, 4);
}

/// Changing the registration alone: where the service works the application
/// is registered as asked; where it does not, the caller has the error and the
/// registration is what it was.
pub proof fn lemma_registration_pass(
    enabled: bool,
    services: Services,
    conditions: ServiceConditions,
)
    ensures
        ({
            let pass = registration_pass(enabled, services, conditions);
            &&& pass.commands == seq![registration_command(enabled)]
            &&& pass.services.stored == services.stored
            &&& if conditions.change_works {
                &&& pass.result == Some(Ok::<(), SettingsErrorView>(()))
                &&& pass.services.registered == enabled
            } else {
                &&& pass.result == Some(
                    Err::<(), SettingsErrorView>(registration_error(enabled, conditions.detail)),
                )
                &&& pass.services.registered == services.registered
            }
        }),
{
    reveal_with_fuel(run_pass, 4);
}

/// At startup: where the registration can be changed it ends up as wanted,
/// and a registration that is seen to be as wanted is not touched.
pub proof fn lemma_startup_pass(wanted: bool, services: Services, conditions: ServiceConditions)
    ensures
        ({
            let pass = startup_pass(wanted, services, conditions);
            &&& pass.services.stored == services.stored
            &&& conditions.change_works ==> pass.services.registered == wanted
            &&& conditions.change_works ==> pass.result == Some(Ok::<(), SettingsErrorView>(()))
            &&& conditions.status_works && services.registered == wanted ==> pass.commands
                == seq![SettingsCommandView::QueryAutoLaunch]
        }),
{
    reveal_with_fuel(run_pass, 4);
    let pass = startup_pass(wanted, services, conditions);
    if conditions.status_works && services.registered == wanted {
        assert(pass.commands =~= seq![SettingsCommandView::QueryAutoLaunch]);
    }
}

} // verus!
